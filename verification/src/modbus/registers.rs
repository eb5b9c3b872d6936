//! Register addresses and model codes of the AI-516/518 controllers.
use vstd::prelude::*;
use crate::text::{hex4, hex4_text};

verus! {

pub const SP1: u16 = 0x00;

pub const P: u16 = 0x07;

pub const I: u16 = 0x08;

pub const D: u16 = 0x09;

pub const DPT: u16 = 0x0C;

pub const MODEL: u16 = 0x15;

pub const MV: u16 = 0x1A;

pub const SRUN: u16 = 0x1B;

pub const PNO: u16 = 0x2B;

pub const PV: u16 = 0x4A;

pub const SV: u16 = 0x4B;

pub const MV_READ: u16 = 0x4C;

pub const SP_START: u16 = 0x50;

pub const MODEL_AI_516: u16 = 5160;

pub const MODEL_AI_516P: u16 = 5167;

pub const MODEL_AI_518: u16 = 5180;

pub const MODEL_AI_518P: u16 = 5187;

/// The display name of a model code.
pub open spec fn model_text(code: u16) -> Seq<char> {
    if code == MODEL_AI_516 {
        "AI-516"@
    } else if code == MODEL_AI_516P {
        "AI-516P"@
    } else if code == MODEL_AI_518 {
        "AI-518"@
    } else if code == MODEL_AI_518P {
        "AI-518P"@
    } else {
        "未知型号(0x"@ + hex4_text(code) + ")"@
    }
}

/// The models this tool may write to.
pub open spec fn supported_model(code: u16) -> bool {
    code == MODEL_AI_516 || code == MODEL_AI_516P || code == MODEL_AI_518 || code == MODEL_AI_518P
}

pub fn model_name(code: u16) -> (name: String)
    ensures
        name@ == model_text(code),
{
    match code {
        MODEL_AI_516 => String::from_str("AI-516"),
        MODEL_AI_516P => String::from_str("AI-516P"),
        MODEL_AI_518 => String::from_str("AI-518"),
        MODEL_AI_518P => String::from_str("AI-518P"),
        other => {
            let mut name = String::from_str("未知型号(0x");
            let digits = hex4(other);
            name.append(digits.as_str());
            name.append(")");
            name
        },
    }
}

pub fn is_supported_model(code: u16) -> (ok: bool)
    ensures
        ok == supported_model(code),
{
    code == MODEL_AI_516 || code == MODEL_AI_516P || code == MODEL_AI_518 || code
        == MODEL_AI_518P
}

} // verus!
