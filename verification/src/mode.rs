use vstd::prelude::*;

verus! {

/// The process-wide switch that decides whether wrapping an error walks the
/// stack. It is handed to every capture as a value; nothing here looks it up.
#[derive(Clone, Copy, Debug, PartialEq, Eq, Structural)]
pub enum CaptureMode {
    /// No stack walk is made.
    Off,
    /// The stack is walked.
    On,
    /// The stack is walked; the switch asked for full detail.
    Full,
}

/// The mode that a textual setting of the switch stands for. An unset switch
/// and the text `0` turn capture off, the text `full` asks for full detail,
/// and any other text turns capture on.
pub open spec fn mode_of_setting(setting: Option<Seq<char>>) -> CaptureMode {
    match setting {
        None => CaptureMode::Off,
        Some(text) => if text == "0"@ {
            CaptureMode::Off
        } else if text == "full"@ {
            CaptureMode::Full
        } else {
            CaptureMode::On
        },
    }
}

impl CaptureMode {
    /// Whether a capture in this mode walks the stack.
    pub open spec fn spec_is_enabled(self) -> bool {
        self != CaptureMode::Off
    }

    /// Whether a capture in this mode walks the stack.
    #[verifier::when_used_as_spec(spec_is_enabled)]
    pub fn is_enabled(self) -> (enabled: bool)
        ensures
            enabled == self.spec_is_enabled(),
    {
        match self {
            CaptureMode::Off => false,
            CaptureMode::On => true,
            CaptureMode::Full => true,
        }
    }

    /// Reads the mode out of the switch's textual value, `None` standing for
    /// an unset switch.
    pub fn from_setting(setting: Option<&str>) -> (mode: CaptureMode)
        ensures
            mode == mode_of_setting(setting.deep_view()),
    {
        match setting {
            None => CaptureMode::Off,
            Some(text) => {
                proof {
                    reveal_strlit("0");
                    reveal_strlit("full");
                }
                let len: usize = text.unicode_len();
                if len == 1 && text.get_char(0) == '0' {
                    assert(text@ =~= "0"@);
                    CaptureMode::Off
                } else if len == 4 && text.get_char(0) == 'f' && text.get_char(1) == 'u'
                    && text.get_char(2) == 'l' && text.get_char(3) == 'l' {
                    assert(text@ =~= "full"@);
                    CaptureMode::Full
                } else {
                    CaptureMode::On
                }
            },
        }
    }
}

} // verus!
