use vstd::prelude::*;

verus! {

/// The performance profiles that the service applies alongside a scheduler.
#[derive(Clone, Copy, Debug, PartialEq, Eq, PartialOrd, Ord, Hash, Structural)]
pub enum ScxLoaderMode {
    Auto,
    Gaming,
    Powersave,
    Lowlatency,
    Server,
}

impl ScxLoaderMode {
    /// The canonical lowercase name of the profile.
    pub open spec fn spec_name(self) -> Seq<char> {
        match self {
            ScxLoaderMode::Auto => seq!['a', 'u', 't', 'o'],
            ScxLoaderMode::Gaming => seq!['g', 'a', 'm', 'i', 'n', 'g'],
            ScxLoaderMode::Powersave => seq!['p', 'o', 'w', 'e', 'r', 's', 'a', 'v', 'e'],
            ScxLoaderMode::Lowlatency => seq!['l', 'o', 'w', 'l', 'a', 't', 'e', 'n', 'c', 'y'],
            ScxLoaderMode::Server => seq!['s', 'e', 'r', 'v', 'e', 'r'],
        }
    }

    /// The code that stands for the profile on the wire.
    pub open spec fn spec_code(self) -> u32 {
        match self {
            ScxLoaderMode::Auto => 0,
            ScxLoaderMode::Gaming => 1,
            ScxLoaderMode::Powersave => 2,
            ScxLoaderMode::Lowlatency => 3,
            ScxLoaderMode::Server => 4,
        }
    }

    /// The profile that a wire code stands for, if any.
    pub open spec fn decode(code: u32) -> Option<ScxLoaderMode> {
        if code == 0 {
            Some(ScxLoaderMode::Auto)
        } else if code == 1 {
            Some(ScxLoaderMode::Gaming)
        } else if code == 2 {
            Some(ScxLoaderMode::Powersave)
        } else if code == 3 {
            Some(ScxLoaderMode::Lowlatency)
        } else if code == 4 {
            Some(ScxLoaderMode::Server)
        } else {
            None
        }
    }

    pub fn as_str(&self) -> (r: &'static str)
        ensures
            r@ == self.spec_name(),
    {
        proof {
            reveal_strlit("auto");
            reveal_strlit("gaming");
            reveal_strlit("powersave");
            reveal_strlit("lowlatency");
            reveal_strlit("server");
        }
        match self {
            ScxLoaderMode::Auto => "auto",
            ScxLoaderMode::Gaming => "gaming",
            ScxLoaderMode::Powersave => "powersave",
            ScxLoaderMode::Lowlatency => "lowlatency",
            ScxLoaderMode::Server => "server",
        }
    }

    pub fn as_u32(&self) -> (r: u32)
        ensures
            r == self.spec_code(),
            r < 5,
    {
        match self {
            ScxLoaderMode::Auto => 0,
            ScxLoaderMode::Gaming => 1,
            ScxLoaderMode::Powersave => 2,
            ScxLoaderMode::Lowlatency => 3,
            ScxLoaderMode::Server => 4,
        }
    }

    /// Decodes a wire code; `None` for a code outside the closed set.
    pub fn from_u32(u: u32) -> (r: Option<Self>)
        ensures
            r == Self::decode(u),
            r is None <==> u >= 5,
    {
        match u {
            0 => Some(ScxLoaderMode::Auto),
            1 => Some(ScxLoaderMode::Gaming),
            2 => Some(ScxLoaderMode::Powersave),
            3 => Some(ScxLoaderMode::Lowlatency),
            4 => Some(ScxLoaderMode::Server),
            _ => None,
        }
    }
}

/// Decoding the code of a profile gives that profile back, and no two profiles
/// share a code.
pub proof fn lemma_mode_round_trip(m: ScxLoaderMode)
    ensures
        ScxLoaderMode::decode(m.spec_code()) == Some(m),
        forall|n: ScxLoaderMode| #[trigger] n.spec_code() == m.spec_code() ==> n == m,
{
}

/// The properties of the service that the client reads.
#[derive(Clone, Copy, Debug, PartialEq, Eq, Structural)]
pub enum ScxProperties {
    CurrentScheduler,
    SchedulerMode,
    SupportedSchedulers,
}

impl ScxProperties {
    pub open spec fn spec_name(self) -> Seq<char> {
        match self {
            ScxProperties::CurrentScheduler => seq![
                'C', 'u', 'r', 'r', 'e', 'n', 't', 'S', 'c', 'h', 'e', 'd', 'u', 'l', 'e', 'r'
            ],
            ScxProperties::SchedulerMode => seq![
                'S', 'c', 'h', 'e', 'd', 'u', 'l', 'e', 'r', 'M', 'o', 'd', 'e'
            ],
            ScxProperties::SupportedSchedulers => seq![
                'S', 'u', 'p', 'p', 'o', 'r', 't', 'e', 'd', 'S', 'c', 'h', 'e', 'd', 'u', 'l', 'e',
                'r', 's'
            ],
        }
    }

    /// The property's name on the bus.
    pub fn as_str(&self) -> (r: &'static str)
        ensures
            r@ == self.spec_name(),
    {
        proof {
            reveal_strlit("CurrentScheduler");
            reveal_strlit("SchedulerMode");
            reveal_strlit("SupportedSchedulers");
        }
        match self {
            ScxProperties::CurrentScheduler => "CurrentScheduler",
            ScxProperties::SchedulerMode => "SchedulerMode",
            ScxProperties::SupportedSchedulers => "SupportedSchedulers",
        }
    }
}

/// The methods of the service that the client invokes.
#[derive(Clone, Copy, Debug, PartialEq, Eq, Structural)]
pub enum ScxMethods {
    StartScheduler,
    StartSchedulerWithArgs,
    SwitchScheduler,
    SwitchSchedulerWithArgs,
    StopScheduler,
}

impl ScxMethods {
    /// The method's name on the bus.
    pub fn as_str(&self) -> (r: &'static str)
        ensures
            r@.len() > 0,
            self == ScxMethods::StartScheduler ==> r@ == "StartScheduler"@,
            self == ScxMethods::StartSchedulerWithArgs ==> r@ == "StartSchedulerWithArgs"@,
            self == ScxMethods::SwitchScheduler ==> r@ == "SwitchScheduler"@,
            self == ScxMethods::SwitchSchedulerWithArgs ==> r@ == "SwitchSchedulerWithArgs"@,
            self == ScxMethods::StopScheduler ==> r@ == "StopScheduler"@,
    {
        proof {
            reveal_strlit("StartScheduler");
            reveal_strlit("StartSchedulerWithArgs");
            reveal_strlit("SwitchScheduler");
            reveal_strlit("SwitchSchedulerWithArgs");
            reveal_strlit("StopScheduler");
        }
        match self {
            ScxMethods::StartScheduler => "StartScheduler",
            ScxMethods::StartSchedulerWithArgs => "StartSchedulerWithArgs",
            ScxMethods::SwitchScheduler => "SwitchScheduler",
            ScxMethods::SwitchSchedulerWithArgs => "SwitchSchedulerWithArgs",
            ScxMethods::StopScheduler => "StopScheduler",
        }
    }
}

/// The literal that the service puts before every scheduler name on the wire.
pub open spec fn scx_prefix() -> Seq<char> {
    seq!['s', 'c', 'x', '_']
}

/// Whether a name carries the wire prefix.
pub open spec fn spec_has_prefix(name: Seq<char>) -> bool {
    name.len() >= scx_prefix().len() && name.subrange(0, scx_prefix().len() as int)
        == scx_prefix()
}

/// A name as it is sent to the service: prefixed, unless it already is.
pub open spec fn add_prefix(name: Seq<char>) -> Seq<char> {
    if spec_has_prefix(name) {
        name
    } else {
        scx_prefix() + name
    }
}

/// A name as the client shows it: without the wire prefix, if it had one.
pub open spec fn strip_prefix(name: Seq<char>) -> Seq<char> {
    if spec_has_prefix(name) {
        name.subrange(scx_prefix().len() as int, name.len() as int)
    } else {
        name
    }
}

/// Whether `name` starts with the wire prefix.
pub fn has_scx_prefix(name: &str) -> (r: bool)
    ensures
        r == spec_has_prefix(name@),
{
    let prefix = "scx_";
    proof {
        reveal_strlit("scx_");
    }
    let n = name.unicode_len();
    if n < 4 {
        return false;
    }
    let mut i: usize = 0;
    while i < 4
        invariant
            i <= 4 <= n,
            n == name@.len(),
            prefix@ == scx_prefix(),
            forall|j: int| 0 <= j < i ==> name@[j] == scx_prefix()[j],
        decreases 4 - i,
    {
        if name.get_char(i) != prefix.get_char(i) {
            assert(name@.subrange(0, 4)[i as int] != scx_prefix()[i as int]);
            return false;
        }
        i = i + 1;
    }
    assert(name@.subrange(0, 4) =~= scx_prefix());
    true
}

/// Adds the wire prefix to a scheduler name that lacks it.
pub fn ensure_scx_prefix(input: String) -> (r: String)
    ensures
        r@ == add_prefix(input@),
{
    if has_scx_prefix(input.as_str()) {
        input
    } else {
        let prefixed = String::from_str("scx_");
        proof {
            reveal_strlit("scx_");
        }
        prefixed.concat(input.as_str())
    }
}

/// Removes the wire prefix from a scheduler name that carries it.
pub fn remove_scx_prefix(input: String) -> (r: String)
    ensures
        r@ == strip_prefix(input@),
{
    if has_scx_prefix(input.as_str()) {
        let n = input.unicode_len();
        input.as_str().substring_char(4, n).to_owned()
    } else {
        input
    }
}

/// Normalisation is idempotent and the two directions agree: stripping the
/// prefix from a prefixed unprefixed name gives the name back, and a name that
/// already carries the prefix is sent as it is.
pub proof fn lemma_prefix_round_trip(name: Seq<char>)
    ensures
        !spec_has_prefix(name) ==> strip_prefix(add_prefix(name)) == name,
        spec_has_prefix(name) ==> add_prefix(name) == name,
        add_prefix(add_prefix(name)) == add_prefix(name),
        strip_prefix(name) == name <==> !spec_has_prefix(name),
{
    let p = scx_prefix();
    if !spec_has_prefix(name) {
        let full = p + name;
        assert(full.subrange(0, 4) =~= p);
        assert(full.subrange(4, full.len() as int) =~= name);
    }
    if spec_has_prefix(name) {
        assert(strip_prefix(name).len() < name.len());
    }
}

} // verus!
