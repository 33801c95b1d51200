use crate::error::FrameArgError;
use crate::text::{is_uint_text, parse_usize, str_eq, uint_text_value};
use crate::types::ReturnModeKind;
use vstd::prelude::*;

verus! {

/// The options of the file-inspection command.
#[derive(Debug)]
pub struct Info {
    /// The name of the file to be inspected.
    pub file: String,
}

/// The first frame of the requested window, as given on the command line:
/// a 1-based index counted from the first frame, or from the last one.
#[derive(Debug, Clone, Copy, PartialEq, Eq, Hash, Structural)]
pub enum StartFrame {
    Forward(usize),
    Backward(usize),
}

/// The last bound of the requested window: a 1-based frame index counted
/// from the first or the last frame, or a frame count from the start bound.
#[derive(Debug, Clone, Copy, PartialEq, Eq, Hash, Structural)]
pub enum EndFrame {
    Forward(usize),
    Backward(usize),
    Count(usize),
}

/// What `parse_start_frame` yields on a given argument: a leading '-' makes
/// the index backward; the rest must be a positive integer.
pub open spec fn spec_parse_start_frame(s: Seq<char>) -> Result<StartFrame, FrameArgError> {
    if s.len() > 0 && s[0] == '-' {
        let rest = s.skip(1);
        if is_uint_text(rest) && uint_text_value(rest) <= usize::MAX {
            if uint_text_value(rest) == 0 {
                Err(FrameArgError::Zero)
            } else {
                Ok(StartFrame::Backward(uint_text_value(rest) as usize))
            }
        } else {
            Err(FrameArgError::NotANumber)
        }
    } else {
        if is_uint_text(s) && uint_text_value(s) <= usize::MAX {
            if uint_text_value(s) == 0 {
                Err(FrameArgError::Zero)
            } else {
                Ok(StartFrame::Forward(uint_text_value(s) as usize))
            }
        } else {
            Err(FrameArgError::NotANumber)
        }
    }
}

/// Parse a `--start` argument: a positive 1-based frame number, or a
/// '-'-prefixed number counted from the last frame. Zero is rejected.
pub fn parse_start_frame(arg: &str) -> (r: Result<StartFrame, FrameArgError>)
    ensures
        r == spec_parse_start_frame(arg@),
{
    let n = arg.unicode_len();
    if n > 0 && arg.get_char(0) == '-' {
        let rest = arg.substring_char(1, n);
        proof {
            assert(rest@ =~= arg@.skip(1));
        }
        match parse_usize(rest) {
            Some(value) => {
                if value == 0 {
                    Err(FrameArgError::Zero)
                } else {
                    Ok(StartFrame::Backward(value))
                }
            },
            None => Err(FrameArgError::NotANumber),
        }
    } else {
        match parse_usize(arg) {
            Some(value) => {
                if value == 0 {
                    Err(FrameArgError::Zero)
                } else {
                    Ok(StartFrame::Forward(value))
                }
            },
            None => Err(FrameArgError::NotANumber),
        }
    }
}

/// What `parse_end_or_count` yields on a given argument: a leading '+' makes
/// the value a frame count, a leading '-' a backward index; the rest must be
/// a positive integer.
pub open spec fn spec_parse_end_or_count(s: Seq<char>) -> Result<EndFrame, FrameArgError> {
    if s.len() > 0 && s[0] == '+' {
        let rest = s.skip(1);
        if is_uint_text(rest) && uint_text_value(rest) <= usize::MAX {
            if uint_text_value(rest) == 0 {
                Err(FrameArgError::Zero)
            } else {
                Ok(EndFrame::Count(uint_text_value(rest) as usize))
            }
        } else {
            Err(FrameArgError::NotANumber)
        }
    } else if s.len() > 0 && s[0] == '-' {
        let rest = s.skip(1);
        if is_uint_text(rest) && uint_text_value(rest) <= usize::MAX {
            if uint_text_value(rest) == 0 {
                Err(FrameArgError::Zero)
            } else {
                Ok(EndFrame::Backward(uint_text_value(rest) as usize))
            }
        } else {
            Err(FrameArgError::NotANumber)
        }
    } else {
        if is_uint_text(s) && uint_text_value(s) <= usize::MAX {
            if uint_text_value(s) == 0 {
                Err(FrameArgError::Zero)
            } else {
                Ok(EndFrame::Forward(uint_text_value(s) as usize))
            }
        } else {
            Err(FrameArgError::NotANumber)
        }
    }
}

/// Parse an `--end` argument: a positive 1-based frame number, a
/// '-'-prefixed number counted from the last frame, or a '+'-prefixed frame
/// count measured from the start bound. Zero is rejected in every form.
pub fn parse_end_or_count(arg: &str) -> (r: Result<EndFrame, FrameArgError>)
    ensures
        r == spec_parse_end_or_count(arg@),
{
    let n = arg.unicode_len();
    if n > 0 && arg.get_char(0) == '+' {
        let rest = arg.substring_char(1, n);
        proof {
            assert(rest@ =~= arg@.skip(1));
        }
        match parse_usize(rest) {
            Some(value) => {
                if value == 0 {
                    Err(FrameArgError::Zero)
                } else {
                    Ok(EndFrame::Count(value))
                }
            },
            None => Err(FrameArgError::NotANumber),
        }
    } else if n > 0 && arg.get_char(0) == '-' {
        let rest = arg.substring_char(1, n);
        proof {
            assert(rest@ =~= arg@.skip(1));
        }
        match parse_usize(rest) {
            Some(value) => {
                if value == 0 {
                    Err(FrameArgError::Zero)
                } else {
                    Ok(EndFrame::Backward(value))
                }
            },
            None => Err(FrameArgError::NotANumber),
        }
    } else {
        match parse_usize(arg) {
            Some(value) => {
                if value == 0 {
                    Err(FrameArgError::Zero)
                } else {
                    Ok(EndFrame::Forward(value))
                }
            },
            None => Err(FrameArgError::NotANumber),
        }
    }
}

/// The return mode configured on the sensor, as given on the command line.
#[derive(Debug, Clone, Copy, PartialEq, Eq, Hash, Structural)]
pub struct VelodyneReturnMode(pub ReturnModeKind);

impl VelodyneReturnMode {
    /// Parse a return-mode name: "strongest", "last" or "dual".
    pub fn from_str(text: &str) -> (r: Option<VelodyneReturnMode>)
        ensures
            text@ == "strongest"@ ==> r == Some(VelodyneReturnMode(ReturnModeKind::Strongest)),
            text@ == "last"@ ==> r == Some(VelodyneReturnMode(ReturnModeKind::Last)),
            text@ == "dual"@ ==> r == Some(VelodyneReturnMode(ReturnModeKind::Dual)),
            text@ != "strongest"@ && text@ != "last"@ && text@ != "dual"@ ==> r is None,
    {
        proof {
            reveal_strlit("strongest");
            reveal_strlit("last");
            reveal_strlit("dual");
            assert("strongest"@.len() == 9);
            assert("last"@.len() == 4);
            assert("dual"@.len() == 4);
            assert("last"@[0] == 'l' && "dual"@[0] == 'd');
        }
        if str_eq(text, "strongest") {
            Some(VelodyneReturnMode(ReturnModeKind::Strongest))
        } else if str_eq(text, "last") {
            Some(VelodyneReturnMode(ReturnModeKind::Last))
        } else if str_eq(text, "dual") {
            Some(VelodyneReturnMode(ReturnModeKind::Dual))
        } else {
            None
        }
    }
}

} // verus!
