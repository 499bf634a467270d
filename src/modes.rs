use vstd::prelude::*;

verus! {

/// The performance profiles as the command line names them: a closed set, with
/// the same names and wire codes as `ScxLoaderMode`. Decoding a code outside
/// the set fails rather than falling back to a default.
#[derive(Clone, Copy, Debug, PartialEq, Eq, PartialOrd, Ord, Hash, Structural)]
pub enum Mode {
    Auto,
    Gaming,
    Powersave,
    Lowlatency,
    Server,
}

impl Mode {
    pub open spec fn spec_name(self) -> Seq<char> {
        match self {
            Mode::Auto => seq!['a', 'u', 't', 'o'],
            Mode::Gaming => seq!['g', 'a', 'm', 'i', 'n', 'g'],
            Mode::Powersave => seq!['p', 'o', 'w', 'e', 'r', 's', 'a', 'v', 'e'],
            Mode::Lowlatency => seq!['l', 'o', 'w', 'l', 'a', 't', 'e', 'n', 'c', 'y'],
            Mode::Server => seq!['s', 'e', 'r', 'v', 'e', 'r'],
        }
    }

    pub open spec fn spec_code(self) -> u32 {
        match self {
            Mode::Auto => 0,
            Mode::Gaming => 1,
            Mode::Powersave => 2,
            Mode::Lowlatency => 3,
            Mode::Server => 4,
        }
    }

    /// The profile that a wire code stands for, if any.
    pub open spec fn decode(code: u32) -> Option<Mode> {
        if code == 0 {
            Some(Mode::Auto)
        } else if code == 1 {
            Some(Mode::Gaming)
        } else if code == 2 {
            Some(Mode::Powersave)
        } else if code == 3 {
            Some(Mode::Lowlatency)
        } else if code == 4 {
            Some(Mode::Server)
        } else {
            None
        }
    }

    pub fn as_str(&self) -> (r: &'static str)
        ensures
            r@ == self.spec_name(),
    {
        proof {
            reveal_strlit("auto");
            reveal_strlit("gaming");
            reveal_strlit("powersave");
            reveal_strlit("lowlatency");
            reveal_strlit("server");
        }
        match self {
            Mode::Auto => "auto",
            Mode::Gaming => "gaming",
            Mode::Powersave => "powersave",
            Mode::Lowlatency => "lowlatency",
            Mode::Server => "server",
        }
    }

    pub fn as_u32(&self) -> (r: u32)
        ensures
            r == self.spec_code(),
            r < 5,
    {
        match self {
            Mode::Auto => 0,
            Mode::Gaming => 1,
            Mode::Powersave => 2,
            Mode::Lowlatency => 3,
            Mode::Server => 4,
        }
    }

    /// Decodes a wire code; `None` for a code outside the closed set.
    pub fn from_u32(u: u32) -> (r: Option<Self>)
        ensures
            r == Self::decode(u),
            r is None <==> u >= 5,
    {
        match u {
            0 => Some(Mode::Auto),
            1 => Some(Mode::Gaming),
            2 => Some(Mode::Powersave),
            3 => Some(Mode::Lowlatency),
            4 => Some(Mode::Server),
            _ => None,
        }
    }
}

/// Decoding the code of a profile gives that profile back.
pub proof fn lemma_cli_mode_round_trip(m: Mode)
    ensures
        Mode::decode(m.spec_code()) == Some(m),
{
}

} // verus!
